use vstd::prelude::*;

verus! {

/// The character for a single decimal digit value below ten.
pub open spec fn digit_char(d: nat) -> char {
    if d == 0 {
        '0'
    } else if d == 1 {
        '1'
    } else if d == 2 {
        '2'
    } else if d == 3 {
        '3'
    } else if d == 4 {
        '4'
    } else if d == 5 {
        '5'
    } else if d == 6 {
        '6'
    } else if d == 7 {
        '7'
    } else if d == 8 {
        '8'
    } else {
        '9'
    }
}

/// Whether `c` is one of the ten decimal digit characters.
pub open spec fn is_digit_char(c: char) -> bool {
    ||| c == '0'
    ||| c == '1'
    ||| c == '2'
    ||| c == '3'
    ||| c == '4'
    ||| c == '5'
    ||| c == '6'
    ||| c == '7'
    ||| c == '8'
    ||| c == '9'
}

/// The decimal numeral of `n`, most significant digit first, with no leading
/// zeros (a single `'0'` for zero).
pub open spec fn decimal_of(n: nat) -> Seq<char>
    decreases n,
{
    if n < 10 {
        seq![digit_char(n)]
    } else {
        decimal_of(n / 10) + seq![digit_char(n % 10)]
    }
}

/// A decimal numeral is never empty, and has at least two digits from ten on.
pub proof fn lemma_decimal_len(n: nat)
    ensures
        decimal_of(n).len() >= 1,
        n >= 10 ==> decimal_of(n).len() >= 2,
    decreases n,
{
    if n >= 10 {
        lemma_decimal_len(n / 10);
    }
}

/// Every character of a decimal numeral is a digit character.
pub proof fn lemma_decimal_digits(n: nat)
    ensures
        forall|i: int| 0 <= i < decimal_of(n).len() ==> is_digit_char(#[trigger] decimal_of(n)[i]),
    decreases n,
{
    if n < 10 {
        assert(decimal_of(n) == seq![digit_char(n)]);
        assert(decimal_of(n)[0] == digit_char(n));
    } else {
        lemma_decimal_digits(n / 10);
        let p = decimal_of(n / 10);
        assert(decimal_of(n) == p + seq![digit_char(n % 10)]);
        assert forall|i: int| 0 <= i < decimal_of(n).len() implies is_digit_char(
            #[trigger] decimal_of(n)[i],
        ) by {
            if i < p.len() {
                assert(decimal_of(n)[i] == p[i]);
            } else {
                assert(decimal_of(n)[i] == digit_char(n % 10));
            }
        }
    }
}

/// Distinct digit values have distinct digit characters.
pub proof fn lemma_digit_char_injective(x: nat, y: nat)
    requires
        x < 10,
        y < 10,
        digit_char(x) == digit_char(y),
    ensures
        x == y,
{
}

/// Distinct numbers have distinct decimal numerals.
pub proof fn lemma_decimal_injective(a: nat, b: nat)
    requires
        decimal_of(a) == decimal_of(b),
    ensures
        a == b,
    decreases a,
{
    lemma_decimal_len(a);
    lemma_decimal_len(b);
    if a < 10 && b < 10 {
        assert(decimal_of(a)[0] == digit_char(a));
        assert(decimal_of(b)[0] == digit_char(b));
        lemma_digit_char_injective(a, b);
    } else if a >= 10 && b >= 10 {
        let pa = decimal_of(a / 10);
        let pb = decimal_of(b / 10);
        assert(decimal_of(a).len() == pa.len() + 1);
        assert(decimal_of(b).len() == pb.len() + 1);
        assert(decimal_of(a)[pa.len() as int] == digit_char(a % 10));
        assert(decimal_of(b)[pb.len() as int] == digit_char(b % 10));
        assert(pa.len() == pb.len());
        assert forall|i: int| 0 <= i < pa.len() implies pa[i] == pb[i] by {
            assert(pa[i] == (pa + seq![digit_char(a % 10)])[i]);
            assert(pb[i] == (pb + seq![digit_char(b % 10)])[i]);
        }
        assert(pa =~= pb);
        lemma_decimal_injective(a / 10, b / 10);
        lemma_digit_char_injective(a % 10, b % 10);
        assert(a % 10 == b % 10);
        assert(a == 10 * (a / 10) + a % 10);
        assert(b == 10 * (b / 10) + b % 10);
    } else {
        assert(false);
    }
}

/// The single-character string for a digit value below ten.
fn digit_str(d: u64) -> (s: &'static str)
    requires
        d < 10,
    ensures
        s@ == seq![digit_char(d as nat)],
{
    let s: &'static str = if d == 0 {
        "0"
    } else if d == 1 {
        "1"
    } else if d == 2 {
        "2"
    } else if d == 3 {
        "3"
    } else if d == 4 {
        "4"
    } else if d == 5 {
        "5"
    } else if d == 6 {
        "6"
    } else if d == 7 {
        "7"
    } else if d == 8 {
        "8"
    } else {
        "9"
    };
    proof {
        reveal_strlit("0");
        reveal_strlit("1");
        reveal_strlit("2");
        reveal_strlit("3");
        reveal_strlit("4");
        reveal_strlit("5");
        reveal_strlit("6");
        reveal_strlit("7");
        reveal_strlit("8");
        reveal_strlit("9");
        assert(s@ =~= seq![digit_char(d as nat)]);
    }
    s
}

/// Renders `n` as its decimal numeral.
pub fn u64_to_decimal(n: u64) -> (s: String)
    ensures
        s@ == decimal_of(n as nat),
    decreases n,
{
    if n < 10 {
        digit_str(n).to_owned()
    } else {
        let mut s = u64_to_decimal(n / 10);
        s.append(digit_str(n % 10));
        s
    }
}

} // verus!
