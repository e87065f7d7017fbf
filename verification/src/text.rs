//! Decimal rendering of unsigned integers.
use vstd::prelude::*;

verus! {

/// The character of one decimal digit.
pub open spec fn digit_char(d: nat) -> char
    recommends
        d < 10,
{
    (48 + d) as char
}

/// The decimal digits of `n`, most significant first, without leading zeros
/// (zero is the single digit `0`).
pub open spec fn decimal_digits(n: nat) -> Seq<char>
    decreases n,
{
    if n < 10 {
        seq![digit_char(n)]
    } else {
        decimal_digits(n / 10).push(digit_char(n % 10))
    }
}

/// A number renders to at least one digit, and to exactly one below ten.
pub proof fn lemma_decimal_digits_len(n: nat)
    ensures
        decimal_digits(n).len() >= 1,
        decimal_digits(n).len() == 1 <==> n < 10,
    decreases n,
{
    if n >= 10 {
        lemma_decimal_digits_len(n / 10);
    }
}

/// Distinct numbers render to distinct texts: the decimal text of a number
/// determines the number.
pub proof fn lemma_decimal_digits_injective(a: nat, b: nat)
    requires
        decimal_digits(a) == decimal_digits(b),
    ensures
        a == b,
    decreases a,
{
    lemma_decimal_digits_len(a);
    lemma_decimal_digits_len(b);
    if a < 10 {
        assert(b < 10);
        assert(decimal_digits(a) =~= seq![digit_char(a)]);
        assert(decimal_digits(b) =~= seq![digit_char(b)]);
        assert(decimal_digits(a)[0] == digit_char(a));
        assert(decimal_digits(b)[0] == digit_char(b));
        assert(digit_char(a) as int == 48 + a);
        assert(digit_char(b) as int == 48 + b);
    } else {
        let da = decimal_digits(a);
        let db = decimal_digits(b);
        assert(da.drop_last() =~= decimal_digits(a / 10));
        assert(db.drop_last() =~= decimal_digits(b / 10));
        assert(da.last() == db.last());
        lemma_decimal_digits_injective(a / 10, b / 10);
        assert(digit_char(a % 10) as int == 48 + a % 10);
        assert(digit_char(b % 10) as int == 48 + b % 10);
    }
}

/// Whether a character is one of the decimal digits `0` to `9`.
pub open spec fn is_digit(c: char) -> bool {
    48 <= c as int <= 57
}

/// The value of a decimal digit character.
pub open spec fn digit_value(c: char) -> int {
    c as int - 48
}

/// Whether every character of a text is a decimal digit.
pub open spec fn all_digits(s: Seq<char>) -> bool {
    forall|i: int| 0 <= i < s.len() ==> is_digit(#[trigger] s[i])
}

/// A text of digits read in base ten, most significant digit first.
pub open spec fn digits_value(s: Seq<char>) -> int
    decreases s.len(),
{
    if s.len() == 0 {
        0
    } else {
        digits_value(s.drop_last()) * 10 + digit_value(s.last())
    }
}

/// The decimal text of a number is its base-ten representation: it is made of digits
/// only, has no leading zero, and read back in base ten it gives the number.
pub proof fn lemma_decimal_digits_value(n: nat)
    ensures
        all_digits(decimal_digits(n)),
        digits_value(decimal_digits(n)) == n,
        decimal_digits(n).len() > 1 ==> decimal_digits(n)[0] != '0',
    decreases n,
{
    lemma_decimal_digits_len(n);
    if n < 10 {
        let d = decimal_digits(n);
        assert(d =~= seq![digit_char(n)]);
        assert(digit_char(n) as int == 48 + n);
        assert(d.drop_last() =~= Seq::<char>::empty());
        assert(d[0] == digit_char(n));
        assert(d.last() == digit_char(n));
        assert(digits_value(d.drop_last()) == 0);
        assert(digits_value(d) == digits_value(d.drop_last()) * 10 + digit_value(d.last()));
    } else {
        let d = decimal_digits(n);
        let e = decimal_digits(n / 10);
        lemma_decimal_digits_value(n / 10);
        lemma_decimal_digits_len(n / 10);
        assert(d.drop_last() =~= e);
        assert(digit_char(n % 10) as int == 48 + n % 10);
        assert(d.last() == digit_char(n % 10));
        assert(digits_value(d) == digits_value(d.drop_last()) * 10 + digit_value(d.last()));
        assert(n == (n / 10) * 10 + n % 10);
        assert forall|i: int| 0 <= i < d.len() implies is_digit(#[trigger] d[i]) by {
            if i < e.len() {
                assert(d[i] == e[i]);
            }
        }
        assert(d[0] == e[0]);
        if e.len() == 1 {
            assert(e =~= seq![digit_char(n / 10)]);
            assert(e[0] == digit_char(n / 10));
            assert(digit_char(n / 10) as int == 48 + n / 10);
        }
    }
}

fn digit_str(d: u128) -> (s: &'static str)
    requires
        d < 10,
    ensures
        s@ == seq![digit_char(d as nat)],
{
    proof {
        reveal_strlit("0");
        reveal_strlit("1");
        reveal_strlit("2");
        reveal_strlit("3");
        reveal_strlit("4");
        reveal_strlit("5");
        reveal_strlit("6");
        reveal_strlit("7");
        reveal_strlit("8");
        reveal_strlit("9");
    }
    if d == 0 {
        "0"
    } else if d == 1 {
        "1"
    } else if d == 2 {
        "2"
    } else if d == 3 {
        "3"
    } else if d == 4 {
        "4"
    } else if d == 5 {
        "5"
    } else if d == 6 {
        "6"
    } else if d == 7 {
        "7"
    } else if d == 8 {
        "8"
    } else {
        "9"
    }
}

/// Renders `n` in decimal, as `Display` does for `u128` and for `Uint128`.
pub fn u128_to_decimal(n: u128) -> (s: String)
    ensures
        s@ == decimal_digits(n as nat),
        all_digits(s@),
        digits_value(s@) == n,
    decreases n,
{
    proof {
        lemma_decimal_digits_value(n as nat);
    }
    if n < 10 {
        String::from_str(digit_str(n))
    } else {
        let mut s = u128_to_decimal(n / 10);
        s.append(digit_str(n % 10));
        s
    }
}

/// The number of fractional decimal places of a `Decimal`.
pub open spec fn decimal_places() -> nat {
    18
}

/// The number of atomics that make one whole unit of a `Decimal` (ten to the eighteenth).
pub open spec fn decimal_fractional() -> nat {
    1_000_000_000_000_000_000
}

/// `n` copies of the digit `0`.
pub open spec fn zeros(n: nat) -> Seq<char> {
    Seq::new(n, |i: int| '0')
}

/// `s` with zeros put in front until it is `width` characters long.
pub open spec fn pad_with_zeros(s: Seq<char>, width: nat) -> Seq<char> {
    if s.len() >= width {
        s
    } else {
        zeros((width - s.len()) as nat) + s
    }
}

/// `s` without the zeros at its end.
pub open spec fn trim_trailing_zeros(s: Seq<char>) -> Seq<char>
    decreases s.len(),
{
    if s.len() > 0 && s.last() == '0' {
        trim_trailing_zeros(s.drop_last())
    } else {
        s
    }
}

/// How a decimal with the given atomics reads: its whole part, and, where the
/// fractional part is not zero, a point and the fractional part written on eighteen
/// places with its trailing zeros dropped.
pub open spec fn decimal_text(atomics: nat) -> Seq<char> {
    let whole = atomics / decimal_fractional();
    let fractional = atomics % decimal_fractional();
    if fractional == 0 {
        decimal_digits(whole)
    } else {
        decimal_digits(whole) + seq!['.'] + trim_trailing_zeros(
            pad_with_zeros(decimal_digits(fractional), decimal_places()),
        )
    }
}

/// Ten to the power `k`.
pub open spec fn pow10(k: nat) -> nat
    decreases k,
{
    if k == 0 {
        1
    } else {
        10 * pow10((k - 1) as nat)
    }
}

/// Whether `f` is how a fractional part `frac` of a decimal reads after its point:
/// between one and eighteen digits, the last of which is not zero, whose value, shifted
/// to the eighteenth place, is `frac`.
pub open spec fn reads_as_fraction(f: Seq<char>, frac: nat) -> bool {
    &&& 1 <= f.len() <= decimal_places()
    &&& all_digits(f)
    &&& f.last() != '0'
    &&& digits_value(f) * pow10((decimal_places() - f.len()) as nat) == frac
}

proof fn lemma_pow10_decimal_fractional()
    ensures
        pow10(decimal_places()) == decimal_fractional(),
{
    reveal_with_fuel(pow10, 19);
}

proof fn lemma_zeros_value(k: nat)
    ensures
        digits_value(zeros(k)) == 0,
        all_digits(zeros(k)),
    decreases k,
{
    if k > 0 {
        lemma_zeros_value((k - 1) as nat);
        assert(zeros(k).drop_last() =~= zeros((k - 1) as nat));
    }
}

/// Zeros in front of a text of digits do not change its value.
proof fn lemma_leading_zeros_value(k: nat, s: Seq<char>)
    ensures
        digits_value(zeros(k) + s) == digits_value(s),
    decreases s.len(),
{
    if s.len() == 0 {
        assert(zeros(k) + s =~= zeros(k));
        lemma_zeros_value(k);
    } else {
        lemma_leading_zeros_value(k, s.drop_last());
        assert((zeros(k) + s).drop_last() =~= zeros(k) + s.drop_last());
        assert((zeros(k) + s).last() == s.last());
    }
}

/// Zeros after a text of digits shift its value by a power of ten.
proof fn lemma_trailing_zeros_value(s: Seq<char>, k: nat)
    ensures
        digits_value(s + zeros(k)) == digits_value(s) * pow10(k),
    decreases k,
{
    if k == 0 {
        assert(s + zeros(k) =~= s);
        assert(pow10(0) == 1);
    } else {
        let k1 = (k - 1) as nat;
        lemma_trailing_zeros_value(s, k1);
        assert((s + zeros(k)).drop_last() =~= s + zeros(k1));
        assert((s + zeros(k)).last() == '0');
        let v = digits_value(s);
        let sz = s + zeros(k);
        assert(digits_value(sz) == digits_value(sz.drop_last()) * 10 + digit_value(sz.last()));
        assert(digit_value('0') == 0);
        assert(pow10(k) == 10 * pow10(k1));
        assert(v * pow10(k1) * 10 == v * (10 * pow10(k1))) by (nonlinear_arith);
    }
}

/// Trimming drops only zeros from the end, and leaves no zero at the end.
proof fn lemma_trim_trailing_zeros(s: Seq<char>)
    ensures
        trim_trailing_zeros(s).len() <= s.len(),
        s =~= trim_trailing_zeros(s) + zeros((s.len() - trim_trailing_zeros(s).len()) as nat),
        trim_trailing_zeros(s).len() > 0 ==> trim_trailing_zeros(s).last() != '0',
    decreases s.len(),
{
    if s.len() > 0 && s.last() == '0' {
        let d = s.drop_last();
        lemma_trim_trailing_zeros(d);
        let t = trim_trailing_zeros(d);
        assert(trim_trailing_zeros(s) == t);
        let m = (d.len() - t.len()) as nat;
        assert(s =~= d.push('0'));
        assert(zeros(m).push('0') =~= zeros(m + 1));
        assert(t + zeros(m + 1) =~= (t + zeros(m)).push('0'));
    } else {
        assert(s + zeros(0) =~= s);
    }
}

/// A number below ten to the `k` has at most `k` digits.
proof fn lemma_decimal_digits_len_bound(n: nat, k: nat)
    requires
        n < pow10(k),
        k >= 1,
    ensures
        decimal_digits(n).len() <= k,
    decreases n,
{
    lemma_decimal_digits_len(n);
    if n >= 10 {
        let k1 = (k - 1) as nat;
        if k == 1 {
            assert(pow10(1) == 10 * pow10(0));
        } else {
            assert(pow10(k) == 10 * pow10(k1));
            assert(n / 10 < pow10(k1)) by (nonlinear_arith)
                requires
                    n < 10 * pow10(k1),
            ;
            lemma_decimal_digits_len_bound(n / 10, k1);
            assert(decimal_digits(n).len() == decimal_digits(n / 10).len() + 1);
        }
    }
}

/// How a decimal reads: its whole part in decimal; where the fractional part is not
/// zero, then a point and digits that, read as the fraction after the point, give the
/// fractional part, with no zero at their end.
pub proof fn lemma_decimal_text_value(atomics: nat)
    ensures
        atomics % decimal_fractional() == 0 ==> decimal_text(atomics) == decimal_digits(
            atomics / decimal_fractional(),
        ),
        atomics % decimal_fractional() != 0 ==> {
            let w = decimal_digits(atomics / decimal_fractional());
            let t = decimal_text(atomics);
            &&& t.len() > w.len() + 1
            &&& t.subrange(0, w.len() as int) == w
            &&& t[w.len() as int] == '.'
            &&& reads_as_fraction(
                t.subrange(w.len() as int + 1, t.len() as int),
                atomics % decimal_fractional(),
            )
        },
{
    let frac = atomics % decimal_fractional();
    if frac != 0 {
        let w = decimal_digits(atomics / decimal_fractional());
        let t = decimal_text(atomics);
        let d = decimal_digits(frac);
        lemma_pow10_decimal_fractional();
        lemma_decimal_digits_len_bound(frac, decimal_places());
        lemma_decimal_digits_value(frac);
        let p = pad_with_zeros(d, decimal_places());
        let z = (decimal_places() - d.len()) as nat;
        if d.len() >= decimal_places() {
            assert(zeros(z) + d =~= d);
        }
        assert(p =~= zeros(z) + d);
        lemma_leading_zeros_value(z, d);
        lemma_zeros_value(z);
        assert(all_digits(p)) by {
            assert forall|i: int| 0 <= i < p.len() implies is_digit(#[trigger] p[i]) by {
                if i < z {
                    assert(p[i] == zeros(z)[i]);
                } else {
                    assert(p[i] == d[i - z]);
                }
            }
        }
        let f = trim_trailing_zeros(p);
        lemma_trim_trailing_zeros(p);
        let m = (p.len() - f.len()) as nat;
        lemma_trailing_zeros_value(f, m);
        assert(p.len() == decimal_places());
        if f.len() == 0 {
            assert(f + zeros(m) =~= zeros(m));
            lemma_zeros_value(m);
        }
        assert(all_digits(f)) by {
            assert forall|i: int| 0 <= i < f.len() implies is_digit(#[trigger] f[i]) by {
                assert(f[i] == (f + zeros(m))[i]);
            }
        }
        assert(t == w + seq!['.'] + f);
        assert(t.subrange(0, w.len() as int) =~= w);
        assert(t.subrange(w.len() as int + 1, t.len() as int) =~= f);
    }
}

/// Renders the decimal with the given atomics through `Display` of
/// `cosmwasm_std::Decimal`. The contract claims that the text is `decimal_text`: the
/// whole part, then, where the fractional part is not zero, a point and the fractional
/// part padded with zeros to eighteen places and stripped of its trailing zeros.
#[verifier::external_body]
pub(crate) fn decimal_to_string(atomics: u128) -> (s: String)
    ensures
        s@ == decimal_text(atomics as nat),
{
    cosmwasm_std::Decimal::raw(atomics).to_string()
}

} // verus!
