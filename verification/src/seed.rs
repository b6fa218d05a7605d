use vstd::prelude::*;
use vstd::string::StringExecFns;
use vstd::utf8::{encode_utf8, decode_utf8, is_ascii_chars};
use vstd::utf8::{encode_utf8_decode_utf8, is_ascii_chars_encode_utf8};

verus! {

/// The character that stands for a digit below ten.
pub open spec fn digit_char(digit: nat) -> char {
    if digit == 0 {
        '0'
    } else if digit == 1 {
        '1'
    } else if digit == 2 {
        '2'
    } else if digit == 3 {
        '3'
    } else if digit == 4 {
        '4'
    } else if digit == 5 {
        '5'
    } else if digit == 6 {
        '6'
    } else if digit == 7 {
        '7'
    } else if digit == 8 {
        '8'
    } else {
        '9'
    }
}

/// The decimal numeral of `n`: its digits from the most significant down,
/// with no leading zero.
pub open spec fn decimal_digits(n: nat) -> Seq<char>
    decreases n,
{
    if n < 10 {
        seq![digit_char(n)]
    } else {
        decimal_digits(n / 10).push(digit_char(n % 10))
    }
}

/// The seed of the account at `index`, as the bytes that are hashed: the
/// UTF-8 encoding of the decimal numeral.
pub open spec fn seed_bytes(index: nat) -> Seq<u8> {
    encode_utf8(decimal_digits(index))
}

/// The digit that a character stands for.
pub open spec fn digit_value(c: char) -> nat {
    if c == '1' {
        1
    } else if c == '2' {
        2
    } else if c == '3' {
        3
    } else if c == '4' {
        4
    } else if c == '5' {
        5
    } else if c == '6' {
        6
    } else if c == '7' {
        7
    } else if c == '8' {
        8
    } else if c == '9' {
        9
    } else {
        0
    }
}

/// The number that a decimal numeral stands for.
pub open spec fn decimal_value(digits: Seq<char>) -> nat
    decreases digits.len(),
{
    if digits.len() == 0 {
        0
    } else {
        decimal_value(digits.drop_last()) * 10 + digit_value(digits.last())
    }
}

/// Ten to the power of `exponent`.
pub open spec fn pow10(exponent: nat) -> nat
    decreases exponent,
{
    if exponent == 0 {
        1
    } else {
        10 * pow10((exponent - 1) as nat)
    }
}

/// Reading a numeral gives the number back.
pub proof fn lemma_decimal_value_of_digits(n: nat)
    ensures
        decimal_value(decimal_digits(n)) == n,
    decreases n,
{
    let digits = decimal_digits(n);
    if n < 10 {
        assert(digits.drop_last() =~= Seq::<char>::empty());
        assert(decimal_value(digits.drop_last()) == 0);
        assert(digits.last() == digit_char(n));
    } else {
        lemma_decimal_value_of_digits(n / 10);
        assert(digits.drop_last() =~= decimal_digits(n / 10));
        assert(digits.last() == digit_char(n % 10));
    }
}

/// Two numbers with the same numeral are the same number.
pub proof fn lemma_decimal_digits_injective(a: nat, b: nat)
    requires
        decimal_digits(a) == decimal_digits(b),
    ensures
        a == b,
{
    lemma_decimal_value_of_digits(a);
    lemma_decimal_value_of_digits(b);
}

/// A numeral holds decimal digits only, so it is ASCII.
pub proof fn lemma_decimal_digits_ascii(n: nat)
    ensures
        forall|i: int|
            0 <= i < decimal_digits(n).len() ==> '0' <= #[trigger] decimal_digits(n)[i] <= '9',
        is_ascii_chars(decimal_digits(n)),
    decreases n,
{
    if n >= 10 {
        lemma_decimal_digits_ascii(n / 10);
    }
}

/// A number below ten to the power of `width` has at most `width` digits, and
/// every number has at least one.
pub proof fn lemma_decimal_digits_len(n: nat, width: nat)
    requires
        width >= 1,
        n < pow10(width),
    ensures
        1 <= decimal_digits(n).len() <= width,
    decreases width,
{
    if n >= 10 {
        assert(pow10(1) == 10) by {
            reveal_with_fuel(pow10, 2);
        }
        assert(width >= 2);
        lemma_decimal_digits_len(n / 10, (width - 1) as nat);
    }
}

/// The seed of an index that fits in 64 bits is between one and twenty bytes
/// long, one byte for each digit.
pub proof fn lemma_seed_bytes_len(index: nat)
    requires
        index <= u64::MAX,
    ensures
        seed_bytes(index).len() == decimal_digits(index).len(),
        1 <= seed_bytes(index).len() <= 20,
{
    assert(pow10(20) == 100_000_000_000_000_000_000) by {
        reveal_with_fuel(pow10, 21);
    }
    lemma_decimal_digits_len(index, 20);
    lemma_decimal_digits_ascii(index);
    is_ascii_chars_encode_utf8(decimal_digits(index));
}

/// Each byte of a seed is the ASCII code of the digit in its place.
pub proof fn lemma_seed_bytes_are_digits(index: nat, i: int)
    requires
        0 <= i < decimal_digits(index).len(),
    ensures
        seed_bytes(index).len() == decimal_digits(index).len(),
        seed_bytes(index)[i] == decimal_digits(index)[i] as u8,
        0x30 <= seed_bytes(index)[i] <= 0x39,
{
    lemma_decimal_digits_ascii(index);
    is_ascii_chars_encode_utf8(decimal_digits(index));
    let c = decimal_digits(index)[i];
    assert('0' <= c <= '9');
}

/// Two indices with the same seed are the same index.
pub proof fn lemma_seed_bytes_injective(a: nat, b: nat)
    requires
        seed_bytes(a) == seed_bytes(b),
    ensures
        a == b,
{
    encode_utf8_decode_utf8(decimal_digits(a));
    encode_utf8_decode_utf8(decimal_digits(b));
    assert(decimal_digits(a) == decode_utf8(seed_bytes(a)));
    assert(decimal_digits(b) == decode_utf8(seed_bytes(b)));
    lemma_decimal_digits_injective(a, b);
}

/// The one-character string of a digit.
fn digit_str(digit: usize) -> (s: &'static str)
    requires
        digit < 10,
    ensures
        s@ == seq![digit_char(digit as nat)],
{
    proof {
        reveal_strlit("0");
        reveal_strlit("1");
        reveal_strlit("2");
        reveal_strlit("3");
        reveal_strlit("4");
        reveal_strlit("5");
        reveal_strlit("6");
        reveal_strlit("7");
        reveal_strlit("8");
        reveal_strlit("9");
    }
    let s = if digit == 0 {
        "0"
    } else if digit == 1 {
        "1"
    } else if digit == 2 {
        "2"
    } else if digit == 3 {
        "3"
    } else if digit == 4 {
        "4"
    } else if digit == 5 {
        "5"
    } else if digit == 6 {
        "6"
    } else if digit == 7 {
        "7"
    } else if digit == 8 {
        "8"
    } else {
        "9"
    };
    assert(s@ =~= seq![digit_char(digit as nat)]);
    s
}

/// The seed of the account at `index`: the decimal numeral of the index.
pub fn index_seed(index: usize) -> (seed: String)
    ensures
        seed@ == decimal_digits(index as nat),
    decreases index,
{
    if index < 10 {
        String::from_str(digit_str(index))
    } else {
        let mut seed = index_seed(index / 10);
        seed.append(digit_str(index % 10));
        assert(seed@ =~= decimal_digits(index as nat));
        seed
    }
}

} // verus!
