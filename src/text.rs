use vstd::prelude::*;

verus! {

/// The single-character spelling of a digit below sixteen; upper-case
/// letters stand for ten to fifteen.
pub open spec fn digit_text(d: nat) -> Seq<char> {
    if d == 0 { "0"@ }
    else if d == 1 { "1"@ }
    else if d == 2 { "2"@ }
    else if d == 3 { "3"@ }
    else if d == 4 { "4"@ }
    else if d == 5 { "5"@ }
    else if d == 6 { "6"@ }
    else if d == 7 { "7"@ }
    else if d == 8 { "8"@ }
    else if d == 9 { "9"@ }
    else if d == 10 { "A"@ }
    else if d == 11 { "B"@ }
    else if d == 12 { "C"@ }
    else if d == 13 { "D"@ }
    else if d == 14 { "E"@ }
    else { "F"@ }
}

/// Upper-case hexadecimal spelling of `n`, most significant digit first,
/// without leading zeros.
pub open spec fn hex_text(n: nat) -> Seq<char>
    decreases n,
{
    if n < 16 {
        digit_text(n)
    } else {
        hex_text(n / 16) + digit_text(n % 16)
    }
}

/// Decimal spelling of `n`, most significant digit first, without leading
/// zeros.
pub open spec fn decimal_text(n: nat) -> Seq<char>
    decreases n,
{
    if n < 10 {
        digit_text(n)
    } else {
        decimal_text(n / 10) + digit_text(n % 10)
    }
}

fn digit_str(d: usize) -> (r: &'static str)
    requires
        d < 16,
    ensures
        r@ == digit_text(d as nat),
{
    match d {
        0 => "0",
        1 => "1",
        2 => "2",
        3 => "3",
        4 => "4",
        5 => "5",
        6 => "6",
        7 => "7",
        8 => "8",
        9 => "9",
        10 => "A",
        11 => "B",
        12 => "C",
        13 => "D",
        14 => "E",
        _ => "F",
    }
}

/// Upper-case hexadecimal spelling of `n`.
pub fn hex_string(n: usize) -> (r: String)
    ensures
        r@ == hex_text(n as nat),
    decreases n,
{
    if n < 16 {
        digit_str(n).to_string()
    } else {
        let mut s = hex_string(n / 16);
        s.append(digit_str(n % 16));
        s
    }
}

/// Decimal spelling of `n`.
pub fn decimal_string(n: usize) -> (r: String)
    ensures
        r@ == decimal_text(n as nat),
    decreases n,
{
    if n < 10 {
        digit_str(n).to_string()
    } else {
        let mut s = decimal_string(n / 10);
        s.append(digit_str(n % 10));
        s
    }
}

/// Each digit is spelled by one character, and different digits by
/// different characters.
pub proof fn lemma_digit_text(d: nat, e: nat)
    requires
        d < 16,
        e < 16,
    ensures
        digit_text(d).len() == 1,
        d != e ==> digit_text(d)[0] != digit_text(e)[0],
{
    reveal_strlit("0");
    reveal_strlit("1");
    reveal_strlit("2");
    reveal_strlit("3");
    reveal_strlit("4");
    reveal_strlit("5");
    reveal_strlit("6");
    reveal_strlit("7");
    reveal_strlit("8");
    reveal_strlit("9");
    reveal_strlit("A");
    reveal_strlit("B");
    reveal_strlit("C");
    reveal_strlit("D");
    reveal_strlit("E");
    reveal_strlit("F");
}

/// A number of sixteen or more takes at least two hexadecimal digits.
pub proof fn lemma_hex_text_len(n: nat)
    ensures
        hex_text(n).len() >= 1,
        n >= 16 ==> hex_text(n).len() >= 2,
    decreases n,
{
    if n < 16 {
        lemma_digit_text(n, n);
    } else {
        lemma_hex_text_len(n / 16);
        lemma_digit_text(n % 16, n % 16);
    }
}

/// Different numbers have different hexadecimal spellings.
pub proof fn lemma_hex_text_injective(a: nat, b: nat)
    requires
        hex_text(a) == hex_text(b),
    ensures
        a == b,
    decreases a + b,
{
    lemma_hex_text_len(a);
    lemma_hex_text_len(b);
    if a < 16 && b < 16 {
        lemma_digit_text(a, b);
    } else if a < 16 {
        lemma_digit_text(a, a);
    } else if b < 16 {
        lemma_digit_text(b, b);
    } else {
        let ha = hex_text(a / 16);
        let hb = hex_text(b / 16);
        lemma_digit_text(a % 16, b % 16);
        lemma_digit_text(b % 16, a % 16);
        assert(hex_text(a) == ha + digit_text(a % 16));
        assert(hex_text(b) == hb + digit_text(b % 16));
        assert(hex_text(a).last() == digit_text(a % 16)[0]);
        assert(hex_text(b).last() == digit_text(b % 16)[0]);
        assert(ha =~= hex_text(a).drop_last());
        assert(hb =~= hex_text(b).drop_last());
        lemma_hex_text_injective(a / 16, b / 16);
    }
}

} // verus!
