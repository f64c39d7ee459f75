//! Text: comparing, printing and reading numerals, trimming.
use vstd::prelude::*;

verus! {

/// Whether two texts are the same.
pub fn same_text(a: &str, b: &str) -> (same: bool)
    ensures
        same == (a@ == b@),
{
    let x = a.as_bytes();
    let y = b.as_bytes();
    proof {
        vstd::utf8::encode_utf8_decode_utf8(a@);
        vstd::utf8::encode_utf8_decode_utf8(b@);
    }
    if x.len() != y.len() {
        return false;
    }
    let mut i: usize = 0;
    while i < x.len()
        invariant
            i <= x@.len(),
            x@.len() == y@.len(),
            x@ == vstd::utf8::encode_utf8(a@),
            y@ == vstd::utf8::encode_utf8(b@),
            forall|j: int| 0 <= j < i ==> x@[j] == y@[j],
        decreases x@.len() - i,
    {
        if x[i] != y[i] {
            return false;
        }
        i += 1;
    }
    assert(x@ =~= y@);
    true
}

/// The digit that stands for `d` in base ten or sixteen.
pub open spec fn digit(d: int) -> char {
    if d <= 0 { '0' }
    else if d == 1 { '1' }
    else if d == 2 { '2' }
    else if d == 3 { '3' }
    else if d == 4 { '4' }
    else if d == 5 { '5' }
    else if d == 6 { '6' }
    else if d == 7 { '7' }
    else if d == 8 { '8' }
    else if d == 9 { '9' }
    else if d == 10 { 'a' }
    else if d == 11 { 'b' }
    else if d == 12 { 'c' }
    else if d == 13 { 'd' }
    else if d == 14 { 'e' }
    else { 'f' }
}

/// The text of one digit below sixteen.
fn digit_text(d: u8) -> (t: &'static str)
    requires
        d < 16,
    ensures
        t@ == seq![digit(d as int)],
{
    proof {
        reveal_strlit("0");
        reveal_strlit("1");
        reveal_strlit("2");
        reveal_strlit("3");
        reveal_strlit("4");
        reveal_strlit("5");
        reveal_strlit("6");
        reveal_strlit("7");
        reveal_strlit("8");
        reveal_strlit("9");
        reveal_strlit("a");
        reveal_strlit("b");
        reveal_strlit("c");
        reveal_strlit("d");
        reveal_strlit("e");
        reveal_strlit("f");
    }
    match d {
        0 => "0",
        1 => "1",
        2 => "2",
        3 => "3",
        4 => "4",
        5 => "5",
        6 => "6",
        7 => "7",
        8 => "8",
        9 => "9",
        10 => "a",
        11 => "b",
        12 => "c",
        13 => "d",
        14 => "e",
        _ => "f",
    }
}

/// The decimal numeral of a natural number, without leading zeros.
pub open spec fn decimal(n: nat) -> Seq<char>
    decreases n,
{
    if n < 10 {
        seq![digit(n as int)]
    } else {
        decimal(n / 10).push(digit((n % 10) as int))
    }
}

/// Appends the decimal numeral of `n`.
pub fn push_decimal(out: &mut String, n: u64)
    ensures
        final(out)@ == old(out)@ + decimal(n as nat),
    decreases n,
{
    if n >= 10 {
        push_decimal(out, n / 10);
    }
    out.append(digit_text((n % 10) as u8));
    assert(out@ =~= old(out)@ + decimal(n as nat));
}

/// The decimal numeral of `n`.
pub fn decimal_text(n: u64) -> (t: String)
    ensures
        t@ == decimal(n as nat),
{
    let mut out = String::new();
    push_decimal(&mut out, n);
    assert(out@ =~= decimal(n as nat));
    out
}

/// The decimal numeral of an integer, with a minus sign in front when negative.
pub open spec fn signed_decimal(n: int) -> Seq<char> {
    if n < 0 {
        seq!['-'] + decimal((-n) as nat)
    } else {
        decimal(n as nat)
    }
}

/// Appends the signed decimal numeral of `n`.
pub fn push_signed(out: &mut String, n: i64)
    ensures
        final(out)@ == old(out)@ + signed_decimal(n as int),
{
    if n < 0 {
        proof {
            reveal_strlit("-");
        }
        out.append("-");
        if n == i64::MIN {
            push_decimal(out, 9223372036854775808u64);
        } else {
            push_decimal(out, (-n) as u64);
        }
    } else {
        push_decimal(out, n as u64);
    }
    assert(out@ =~= old(out)@ + signed_decimal(n as int));
}

/// A numeral padded with a zero in front to at least two characters.
pub open spec fn two_digits(n: nat) -> Seq<char> {
    if n < 10 {
        seq!['0'] + decimal(n)
    } else {
        decimal(n)
    }
}

/// Appends `n`, padded with a zero in front to at least two characters.
pub fn push_two_digits(out: &mut String, n: u32)
    ensures
        final(out)@ == old(out)@ + two_digits(n as nat),
{
    if n < 10 {
        proof {
            reveal_strlit("0");
        }
        out.append("0");
    }
    push_decimal(out, n as u64);
    assert(out@ =~= old(out)@ + two_digits(n as nat));
}

/// The lower-case hexadecimal rendering of a byte string, two digits a byte.
pub open spec fn lower_hex(bytes: Seq<u8>) -> Seq<char> {
    Seq::new(
        2 * bytes.len(),
        |i: int|
            if i % 2 == 0 {
                digit(bytes[i / 2] as int / 16)
            } else {
                digit(bytes[i / 2] as int % 16)
            },
    )
}

/// Renders a byte string in lower-case hexadecimal.
pub fn lower_hex_text(bytes: &[u8]) -> (t: String)
    ensures
        t@ == lower_hex(bytes@),
{
    let mut out = String::new();
    let mut i: usize = 0;
    while i < bytes.len()
        invariant
            i <= bytes@.len(),
            out@ == lower_hex(bytes@.take(i as int)),
        decreases bytes@.len() - i,
    {
        let b = bytes[i];
        out.append(digit_text(b / 16));
        out.append(digit_text(b % 16));
        proof {
            let shorter = bytes@.take(i as int);
            let longer = bytes@.take(i + 1);
            assert(lower_hex(longer) =~= lower_hex(shorter) + seq![digit((b / 16) as int)] + seq![
                digit((b % 16) as int),
            ]);
        }
        i += 1;
    }
    assert(bytes@.take(i as int) =~= bytes@);
    out
}

/// The characters with the Unicode property White_Space.
pub open spec fn is_white_space(c: char) -> bool {
    ||| '\u{9}' <= c <= '\u{d}'
    ||| c == ' '
    ||| c == '\u{85}'
    ||| c == '\u{a0}'
    ||| c == '\u{1680}'
    ||| '\u{2000}' <= c <= '\u{200a}'
    ||| c == '\u{2028}'
    ||| c == '\u{2029}'
    ||| c == '\u{202f}'
    ||| c == '\u{205f}'
    ||| c == '\u{3000}'
}

/// `s` without the white space at its front.
pub open spec fn trimmed_front(s: Seq<char>) -> Seq<char>
    decreases s.len(),
{
    if s.len() > 0 && is_white_space(s.first()) {
        trimmed_front(s.drop_first())
    } else {
        s
    }
}

/// `s` without the white space at its back.
pub open spec fn trimmed_back(s: Seq<char>) -> Seq<char>
    decreases s.len(),
{
    if s.len() > 0 && is_white_space(s.last()) {
        trimmed_back(s.drop_last())
    } else {
        s
    }
}

/// `s` without the white space at either end.
pub open spec fn trimmed(s: Seq<char>) -> Seq<char> {
    trimmed_back(trimmed_front(s))
}

/// `str::trim` of std: the text without leading and trailing white space, where
/// white space is the Unicode property White_Space.
pub assume_specification[ str::trim ](s: &str) -> (t: &str)
    ensures
        t@ == trimmed(s@),
;

/// Whether `c` is a decimal digit.
pub open spec fn is_digit(c: char) -> bool {
    '0' <= c <= '9'
}

/// Whether a text holds decimal digits and nothing else.
pub open spec fn all_digits(s: Seq<char>) -> bool {
    forall|i: int| 0 <= i < s.len() ==> is_digit(#[trigger] s[i])
}

/// The number that a string of decimal digits stands for.
pub open spec fn digits_value(s: Seq<char>) -> nat
    decreases s.len(),
{
    if s.len() == 0 {
        0
    } else {
        digits_value(s.drop_last()) * 10 + (s.last() as nat - '0' as nat) as nat
    }
}

/// The integer that a text stands for: an optional sign, then decimal digits and
/// nothing else.
pub open spec fn integer_value(s: Seq<char>) -> Option<int> {
    let signed = s.len() > 0 && (s[0] == '+' || s[0] == '-');
    let digits = if signed { s.drop_first() } else { s };
    if digits.len() > 0 && all_digits(digits) {
        if s[0] == '-' {
            Some(-(digits_value(digits) as int))
        } else {
            Some(digits_value(digits) as int)
        }
    } else {
        None
    }
}

/// std's error for a text that is no integer of the wanted type.
#[verifier::external_type_specification]
#[verifier::external_body]
pub struct ExParseIntError(std::num::ParseIntError);

/// The error with which a text that holds no 64-bit integer is refused.
pub uninterp spec fn i64_parse_error(s: Seq<char>) -> std::num::ParseIntError;

/// `str::parse` of std into an `i64`: an optional sign, then decimal digits and
/// nothing else, and the value must fit. Any other text is an error that depends on
/// the text alone.
#[verifier::external_body]
pub(crate) fn parse_i64(s: &str) -> (r: Result<i64, std::num::ParseIntError>)
    ensures
        match r {
            Ok(n) => integer_value(s@) == Some(n as int),
            Err(e) => {
                &&& e == i64_parse_error(s@)
                &&& integer_value(s@) matches Some(n) ==> !(i64::MIN <= n <= i64::MAX)
            },
        },
{
    s.parse::<i64>()
}

/// A decimal numeral is made of digits and stands for its number.
pub proof fn lemma_decimal_value(n: nat)
    ensures
        decimal(n).len() > 0,
        all_digits(decimal(n)),
        digits_value(decimal(n)) == n,
    decreases n,
{
    if n < 10 {
        assert(decimal(n).drop_last() =~= Seq::<char>::empty());
        assert(digits_value(decimal(n).drop_last()) == 0);
    } else {
        lemma_decimal_value(n / 10);
        assert(decimal(n).drop_last() =~= decimal(n / 10));
    }
}

/// Reading back the signed decimal numeral of an integer gives that integer.
pub proof fn signed_decimal_reads_back(n: int)
    ensures
        integer_value(signed_decimal(n)) == Some(n),
{
    let magnitude = if n < 0 { (-n) as nat } else { n as nat };
    lemma_decimal_value(magnitude);
    let s = signed_decimal(n);
    if n < 0 {
        assert(s.drop_first() =~= decimal(magnitude));
    } else {
        assert(is_digit(s[0]));
    }
}

/// Different natural numbers have different decimal numerals.
pub proof fn decimal_is_injective(a: nat, b: nat)
    requires
        decimal(a) == decimal(b),
    ensures
        a == b,
{
    lemma_decimal_value(a);
    lemma_decimal_value(b);
}

/// Byte strings with the same hexadecimal rendering are the same.
pub proof fn lower_hex_is_injective(a: Seq<u8>, b: Seq<u8>)
    requires
        lower_hex(a) == lower_hex(b),
    ensures
        a == b,
{
    assert(lower_hex(a).len() == 2 * a.len());
    assert(lower_hex(b).len() == 2 * b.len());
    assert forall|i: int| 0 <= i < a.len() implies a[i] == b[i] by {
        assert((2 * i) / 2 == i && (2 * i) % 2 == 0);
        assert((2 * i + 1) / 2 == i && (2 * i + 1) % 2 == 1);
        assert(lower_hex(a)[2 * i] == digit(a[i] as int / 16));
        assert(lower_hex(b)[2 * i] == digit(b[i] as int / 16));
        assert(lower_hex(a)[2 * i + 1] == digit(a[i] as int % 16));
        assert(lower_hex(b)[2 * i + 1] == digit(b[i] as int % 16));
        lemma_digit_is_injective(a[i] as int / 16, b[i] as int / 16);
        lemma_digit_is_injective(a[i] as int % 16, b[i] as int % 16);
    }
    assert(a =~= b);
}

proof fn lemma_digit_is_injective(a: int, b: int)
    requires
        0 <= a < 16,
        0 <= b < 16,
        digit(a) == digit(b),
    ensures
        a == b,
{
}

/// A decimal numeral has no zero in front, but for the numeral of zero itself.
pub proof fn decimal_has_no_leading_zero(n: nat)
    ensures
        n > 0 ==> decimal(n)[0] != '0',
        n == 0 ==> decimal(n) == seq!['0'],
    decreases n,
{
    if n >= 10 {
        decimal_has_no_leading_zero(n / 10);
        lemma_decimal_value(n / 10);
    }
}

/// A text of digits without a zero in front is the decimal numeral of its value, and
/// no other number's.
pub proof fn numeral_is_unique(s: Seq<char>)
    requires
        s.len() > 0,
        all_digits(s),
        s.len() > 1 ==> s[0] != '0',
    ensures
        decimal(digits_value(s)) == s,
    decreases s.len(),
{
    let rest = s.drop_last();
    assert(is_digit(s.last()));
    let d = (s.last() as nat - '0' as nat) as nat;
    assert(digit(d as int) == s.last());
    if s.len() == 1 {
        assert(digits_value(rest) == 0);
        assert(s =~= seq![s.last()]);
    } else {
        assert forall|i: int| 0 <= i < rest.len() implies is_digit(#[trigger] rest[i]) by {
            assert(rest[i] == s[i]);
        }
        assert(rest[0] == s[0]);
        numeral_is_unique(rest);
        let v = digits_value(rest);
        if v == 0 {
            decimal_has_no_leading_zero(0);
            assert(rest[0] == '0');
        }
        assert((v * 10 + d) / 10 == v && (v * 10 + d) % 10 == d);
        assert(s =~= rest.push(s.last()));
    }
}

/// Digits have the value of their place: what stands in front of `b` counts ten times
/// as much for each digit of `b`.
pub proof fn digits_are_positional(a: Seq<char>, b: Seq<char>)
    ensures
        digits_value(a + b) == digits_value(a) * vstd::arithmetic::power::pow(10, b.len())
            + digits_value(b),
    decreases b.len(),
{
    reveal(vstd::arithmetic::power::pow);
    if b.len() == 0 {
        assert(a + b =~= a);
    } else {
        let rest = b.drop_last();
        digits_are_positional(a, rest);
        assert((a + b).drop_last() =~= a + rest);
        let p = vstd::arithmetic::power::pow(10, rest.len());
        let v = digits_value(a);
        assert(v * p * 10 == v * (10 * p)) by (nonlinear_arith);
    }
}

/// The value of a single digit is its distance from the digit zero.
pub proof fn digit_counts_from_zero(c: char)
    requires
        is_digit(c),
    ensures
        digits_value(seq![c]) == c as int - '0' as int,
{
    assert(seq![c].drop_last() =~= Seq::<char>::empty());
    assert(digits_value(seq![c].drop_last()) == 0);
}

/// A padded numeral has at least two digits, stands for its number, and has a zero in
/// front exactly where its number has one digit.
pub proof fn padded_numeral_reads_back(n: nat)
    ensures
        all_digits(two_digits(n)),
        digits_value(two_digits(n)) == n,
        two_digits(n).len() >= 2,
        n < 100 ==> two_digits(n).len() == 2,
        two_digits(n)[0] == '0' <==> n < 10,
{
    lemma_decimal_value(n);
    decimal_has_no_leading_zero(n);
    if n < 10 {
        digits_are_positional(seq!['0'], decimal(n));
        digit_counts_from_zero('0');
        assert(digits_value(two_digits(n)) == n) by {
            assert(0 * vstd::arithmetic::power::pow(10, decimal(n).len()) == 0);
        }
    } else {
        lemma_decimal_value(n / 10);
        assert(decimal(n).len() >= 2);
        if n < 100 {
            assert(decimal(n / 10).len() == 1);
        }
    }
}

/// A signed numeral has a minus sign in front exactly where its number is negative,
/// and else nothing but digits.
pub proof fn sign_stands_in_front(n: int)
    ensures
        n < 0 ==> signed_decimal(n)[0] == '-' && all_digits(signed_decimal(n).skip(1))
            && signed_decimal(n)[1] != '0',
        n >= 0 ==> all_digits(signed_decimal(n)),
        n > 0 ==> signed_decimal(n)[0] != '0',
        n == 0 ==> signed_decimal(n).len() == 1,
{
    let magnitude = if n < 0 { (-n) as nat } else { n as nat };
    lemma_decimal_value(magnitude);
    decimal_has_no_leading_zero(magnitude);
    if n < 0 {
        assert(signed_decimal(n).skip(1) =~= decimal(magnitude));
    }
}

/// Digits are read as their value, and so they are behind a plus sign; behind a minus
/// sign they are read as its negative.
pub proof fn signs_are_read(digits: Seq<char>)
    requires
        digits.len() > 0,
        all_digits(digits),
    ensures
        integer_value(digits) == Some(digits_value(digits) as int),
        integer_value(seq!['+'] + digits) == Some(digits_value(digits) as int),
        integer_value(seq!['-'] + digits) == Some(-(digits_value(digits) as int)),
{
    assert(is_digit(digits[0]));
    assert((seq!['+'] + digits).drop_first() =~= digits);
    assert((seq!['-'] + digits).drop_first() =~= digits);
}

/// A text is no integer that holds anything but digits behind its sign, or that has no
/// digit at all.
pub proof fn other_texts_are_no_integers(s: Seq<char>, i: int)
    requires
        0 <= i < s.len(),
        !is_digit(s[i]),
        i == 0 && s.len() > 1 ==> s[0] != '+' && s[0] != '-',
    ensures
        integer_value(s) is None,
        integer_value(Seq::empty()) is None,
{
    if s[0] == '+' || s[0] == '-' {
        if i > 0 {
            assert(s.drop_first()[i - 1] == s[i]);
        }
    }
}

/// The value of a hexadecimal digit in lower case.
pub open spec fn hex_value(c: char) -> int {
    if is_digit(c) {
        c as int - '0' as int
    } else {
        c as int - 'a' as int + 10
    }
}

/// Hexadecimal text has two lower-case digits for each byte, which read back as the
/// byte, the upper half first.
pub proof fn lower_hex_reads_back(bytes: Seq<u8>)
    ensures
        lower_hex(bytes).len() == 2 * bytes.len(),
        forall|i: int|
            0 <= i < bytes.len() ==> #[trigger] bytes[i] == 16 * hex_value(
                lower_hex(bytes)[2 * i],
            ) + hex_value(lower_hex(bytes)[2 * i + 1]),
        forall|j: int|
            0 <= j < 2 * bytes.len() ==> is_digit(#[trigger] lower_hex(bytes)[j]) || 'a'
                <= lower_hex(bytes)[j] <= 'f',
{
    let t = lower_hex(bytes);
    assert forall|i: int| 0 <= i < bytes.len() implies #[trigger] bytes[i] == 16 * hex_value(
        t[2 * i],
    ) + hex_value(t[2 * i + 1]) by {
        assert((2 * i) / 2 == i && (2 * i) % 2 == 0);
        assert((2 * i + 1) / 2 == i && (2 * i + 1) % 2 == 1);
        lemma_digit_reads_back(bytes[i] as int / 16);
        lemma_digit_reads_back(bytes[i] as int % 16);
    }
    assert forall|j: int| 0 <= j < 2 * bytes.len() implies is_digit(#[trigger] t[j]) || 'a' <= t[j]
        <= 'f' by {
        lemma_digit_reads_back(bytes[j / 2] as int / 16);
        lemma_digit_reads_back(bytes[j / 2] as int % 16);
    }
}

proof fn lemma_digit_reads_back(d: int)
    requires
        0 <= d < 16,
    ensures
        hex_value(digit(d)) == d,
        is_digit(digit(d)) || 'a' <= digit(d) <= 'f',
{
}

proof fn lemma_trimmed_front(s: Seq<char>) -> (i: int)
    ensures
        0 <= i <= s.len(),
        trimmed_front(s) == s.skip(i),
        forall|k: int| 0 <= k < i ==> is_white_space(#[trigger] s[k]),
        i < s.len() ==> !is_white_space(s[i]),
    decreases s.len(),
{
    if s.len() > 0 && is_white_space(s.first()) {
        let rest = s.drop_first();
        let i = lemma_trimmed_front(rest);
        assert(rest.skip(i) =~= s.skip(i + 1));
        assert forall|k: int| 0 <= k < i + 1 implies is_white_space(#[trigger] s[k]) by {
            if k > 0 {
                assert(rest[k - 1] == s[k]);
            }
        }
        if i + 1 < s.len() {
            assert(rest[i] == s[i + 1]);
        }
        i + 1
    } else {
        assert(s.skip(0) =~= s);
        0
    }
}

proof fn lemma_trimmed_back(s: Seq<char>) -> (j: int)
    ensures
        0 <= j <= s.len(),
        trimmed_back(s) == s.take(j),
        forall|k: int| j <= k < s.len() ==> is_white_space(#[trigger] s[k]),
        j > 0 ==> !is_white_space(s[j - 1]),
    decreases s.len(),
{
    if s.len() > 0 && is_white_space(s.last()) {
        let rest = s.drop_last();
        let j = lemma_trimmed_back(rest);
        assert(rest.take(j) =~= s.take(j));
        assert forall|k: int| j <= k < s.len() implies is_white_space(#[trigger] s[k]) by {
            if k < rest.len() {
                assert(rest[k] == s[k]);
            }
        }
        if j > 0 {
            assert(rest[j - 1] == s[j - 1]);
        }
        j
    } else {
        assert(s.take(s.len() as int) =~= s);
        s.len() as int
    }
}

/// Trimming takes nothing but white space off a text, and all that there is at either
/// end.
pub proof fn trimming_takes_white_space(s: Seq<char>) -> (ends: (int, int))
    ensures
        0 <= ends.0 <= ends.1 <= s.len(),
        trimmed(s) == s.subrange(ends.0, ends.1),
        forall|k: int| 0 <= k < ends.0 || ends.1 <= k < s.len() ==> is_white_space(#[trigger] s[k]),
        trimmed(s).len() > 0 ==> !is_white_space(trimmed(s).first()) && !is_white_space(
            trimmed(s).last(),
        ),
{
    let i = lemma_trimmed_front(s);
    let front = s.skip(i);
    let j = lemma_trimmed_back(front);
    assert(front.take(j) =~= s.subrange(i, i + j));
    assert forall|k: int| 0 <= k < i || i + j <= k < s.len() implies is_white_space(
        #[trigger] s[k],
    ) by {
        if k >= i + j {
            assert(front[k - i] == s[k]);
        }
    }
    (i, i + j)
}

} // verus!
