//! Token amounts: the on-chain integer and its decimal text at 18 decimals
//! (the chain's native unit), converted by ethers' `format_units` and
//! `parse_units`.
use vstd::prelude::*;

use crate::decimal::{
    all_digits, decimal_text, digits_value, is_digit, lemma_decimal_text, lemma_decimal_text_len,
    lemma_digits_value_append, lemma_pad_left, lemma_pow10_positive, lemma_zeros_value, pad_left, pow10,
    zeros,
};
use crate::eth::{u256_bound, u256_value, lemma_u256_value_bound};

verus! {

/// The text `format_units(n, "ether")` gives: the integer part, a point, and
/// the remainder padded with zeros to 18 digits.
pub open spec fn ether_text(n: nat) -> Seq<char> {
    decimal_text(n / pow10(18)) + seq!['.'] + pad_left(decimal_text(n % pow10(18)), 18)
}

pub open spec fn has_point(s: Seq<char>) -> bool {
    exists|i: int| 0 <= i < s.len() && s[i] == '.'
}

/// Where the decimal point stands, or the length when there is none.
pub open spec fn point_at(s: Seq<char>) -> int {
    if has_point(s) {
        choose|i: int| 0 <= i < s.len() && s[i] == '.'
    } else {
        s.len() as int
    }
}

/// The amounts this library accepts: digits with at most one decimal point,
/// and at least one digit.
pub open spec fn is_amount_text(s: Seq<char>) -> bool {
    &&& s.len() > 0
    &&& forall|i: int| 0 <= i < s.len() ==> is_digit(#[trigger] s[i]) || s[i] == '.'
    &&& forall|i: int, j: int|
        0 <= i < s.len() && 0 <= j < s.len() && #[trigger] s[i] == '.' && #[trigger] s[j] == '.'
            ==> i == j
    &&& s != seq!['.']
}

pub open spec fn int_part(s: Seq<char>) -> Seq<char> {
    s.take(point_at(s))
}

pub open spec fn frac_part(s: Seq<char>) -> Seq<char> {
    if has_point(s) {
        s.skip(point_at(s) + 1)
    } else {
        Seq::empty()
    }
}

/// Fraction digits that count: those past the 18th are dropped.
pub open spec fn kept_frac_len(s: Seq<char>) -> nat {
    if frac_part(s).len() <= 18 {
        frac_part(s).len()
    } else {
        18
    }
}

/// The integer, in units of 10^-18, that an amount text stands for; digits
/// past the 18th decimal are truncated.
pub open spec fn amount_value(s: Seq<char>) -> nat {
    digits_value(int_part(s) + frac_part(s).take(kept_frac_len(s) as int)) * pow10(
        (18 - kept_frac_len(s)) as nat,
    )
}

/// The amount text multiplied out to whole units of 10^-18.
pub open spec fn scaled_digits(s: Seq<char>) -> Seq<char> {
    int_part(s) + frac_part(s).take(kept_frac_len(s) as int) + zeros((18 - kept_frac_len(s)) as nat)
}

#[derive(Debug, Clone, Copy, PartialEq, Eq, Structural)]
pub enum AmountError {
    /// Not digits with at most one decimal point.
    Malformed,
    /// Well formed, but 2^256 units or more.
    TooLarge,
}

/// Relies on ethers::utils::format_units with the "ether" unit: for a `U256`
/// and 18 decimals it cannot fail, and it writes the quotient by 10^18, a
/// point, and the remainder zero-padded to 18 digits.
#[verifier::external_body]
fn format_units_ether(x: ethers::types::U256) -> (r: Option<String>)
    ensures
        r is Some,
        r->Some_0@ == ether_text(u256_value(x)),
{
    ethers::utils::format_units(x, "ether").ok()
}

/// Relies on ethers::utils::parse_units with the "ether" unit: on digits with
/// at most one point it multiplies out to 18 decimals, truncating further
/// digits; it cannot fail nor overflow where the result fits.
#[verifier::external_body]
fn parse_units_ether(s: &str) -> (r: Option<ethers::types::U256>)
    requires
        is_amount_text(s@),
        amount_value(s@) < u256_bound(),
    ensures
        r is Some,
        u256_value(r->Some_0) == amount_value(s@),
{
    ethers::utils::parse_units(s, "ether").ok().map(|p| p.into())
}

/// Relies on U256::from_dec_str: it accepts decimal digits only, and fails when
/// the number does not fit in 256 bits.
#[verifier::external_body]
fn u256_from_dec_str(s: &str) -> (r: Option<ethers::types::U256>)
    ensures
        r is Some == (all_digits(s@) && digits_value(s@) < u256_bound()),
        r is Some ==> u256_value(r->Some_0) == digits_value(s@),
{
    ethers::types::U256::from_dec_str(s).ok()
}

/// The decimal text of an amount in units of 10^-18, e.g. "1.500000000000000000".
pub fn format_ether(x: ethers::types::U256) -> (r: String)
    ensures
        r@ == ether_text(u256_value(x)),
{
    match format_units_ether(x) {
        Some(t) => t,
        None => String::new(),
    }
}

/// Reads a decimal amount of ether (or of a token with 18 decimals) into its
/// integer in units of 10^-18.
pub fn parse_ether(s: &str) -> (r: Result<ethers::types::U256, AmountError>)
    ensures
        match r {
            Ok(v) => is_amount_text(s@) && amount_value(s@) < u256_bound() && u256_value(v)
                == amount_value(s@),
            Err(AmountError::Malformed) => !is_amount_text(s@),
            Err(AmountError::TooLarge) => is_amount_text(s@) && amount_value(s@) >= u256_bound(),
        },
{
    let n = s.unicode_len();
    if n == 0 {
        return Err(AmountError::Malformed);
    }
    let mut point: usize = n;
    let mut i: usize = 0;
    while i < n
        invariant
            n == s@.len(),
            i <= n,
            point == n || (point < i && s@[point as int] == '.'),
            forall|j: int| 0 <= j < i && j != point ==> s@[j] != '.',
            forall|j: int| 0 <= j < i ==> is_digit(#[trigger] s@[j]) || s@[j] == '.',
        decreases n - i,
    {
        let c = s.get_char(i);
        if c == '.' {
            if point < n {
                assert(!is_amount_text(s@));
                return Err(AmountError::Malformed);
            }
            point = i;
        } else if !('0' <= c && c <= '9') {
            assert(!is_amount_text(s@));
            return Err(AmountError::Malformed);
        }
        i = i + 1;
    }
    if n == 1 && point == 0 {
        assert(s@ =~= seq!['.']);
        return Err(AmountError::Malformed);
    }
    proof {
        assert(is_amount_text(s@)) by {
            if s@ == seq!['.'] {
                assert(s@[0] == '.');
            }
        }
        if point < n {
            assert(has_point(s@));
            assert(point_at(s@) == point as int);
        } else {
            assert(!has_point(s@));
        }
    }
    let int_text = s.substring_char(0, point);
    let mut digits = String::from_str(int_text);
    let mut kept: usize = 0;
    if point < n {
        kept = if n - (point + 1) <= 18 { n - (point + 1) } else { 18 };
        let frac_text = s.substring_char(point + 1, point + 1 + kept);
        assert(frac_text@ =~= frac_part(s@).take(kept as int));
        digits.append(frac_text);
    } else {
        assert(frac_part(s@).take(0) =~= Seq::<char>::empty());
        assert(digits@ =~= int_part(s@) + frac_part(s@).take(0));
    }
    assert(kept == kept_frac_len(s@));
    let pad = "000000000000000000";
    proof {
        reveal_strlit("000000000000000000");
    }
    let zero_text = pad.substring_char(0, 18 - kept);
    assert(zero_text@ =~= zeros((18 - kept) as nat));
    digits.append(zero_text);
    assert(digits@ =~= scaled_digits(s@));
    proof {
        lemma_scaled_digits(s@);
    }
    match u256_from_dec_str(digits.as_str()) {
        None => Err(AmountError::TooLarge),
        Some(_) => match parse_units_ether(s) {
            Some(v) => Ok(v),
            None => Err(AmountError::TooLarge),
        },
    }
}

/// The scaled digit text spells exactly the amount's value.
pub proof fn lemma_scaled_digits(s: Seq<char>)
    requires
        is_amount_text(s),
    ensures
        all_digits(scaled_digits(s)),
        digits_value(scaled_digits(s)) == amount_value(s),
{
    let head = int_part(s) + frac_part(s).take(kept_frac_len(s) as int);
    let m = (18 - kept_frac_len(s)) as nat;
    lemma_zeros_value(m);
    lemma_digits_value_append(head, zeros(m));
    if has_point(s) {
        let p = point_at(s);
        assert(0 <= p < s.len() && s[p] == '.');
    }
    assert(all_digits(head)) by {
        let p = point_at(s);
        assert forall|i: int| 0 <= i < head.len() implies is_digit(#[trigger] head[i]) by {
            if i < int_part(s).len() {
                assert(head[i] == s[i]);
                assert(s[i] != '.');
            } else {
                assert(head[i] == s[p + 1 + (i - int_part(s).len())]);
            }
        }
    }
    assert(all_digits(scaled_digits(s))) by {
        assert forall|i: int| 0 <= i < scaled_digits(s).len() implies is_digit(
            #[trigger] scaled_digits(s)[i],
        ) by {
            if i < head.len() {
                assert(scaled_digits(s)[i] == head[i]);
            } else {
                assert(scaled_digits(s)[i] == zeros(m)[i - head.len()]);
            }
        }
    }
}

/// Formatting an amount to ether text and reading that text back gives the
/// same integer, for every `U256`.
pub proof fn lemma_ether_round_trip(x: ethers::types::U256)
    ensures
        is_amount_text(ether_text(u256_value(x))),
        amount_value(ether_text(u256_value(x))) == u256_value(x),
        amount_value(ether_text(u256_value(x))) < u256_bound(),
{
    let n = u256_value(x);
    lemma_u256_value_bound(x);
    let e = pow10(18);
    lemma_pow10_positive(18);
    let int_text = decimal_text(n / e);
    let low = decimal_text(n % e);
    lemma_decimal_text(n / e);
    lemma_decimal_text(n % e);
    lemma_decimal_text_len(n % e, 18);
    lemma_pad_left(low, 18);
    let frac = pad_left(low, 18);
    let t = ether_text(n);
    let p = int_text.len() as int;
    assert(t[p] == '.');
    assert forall|i: int| 0 <= i < t.len() && i != p implies is_digit(#[trigger] t[i]) by {
        if i < p {
            assert(t[i] == int_text[i]);
        } else {
            assert(t[i] == frac[i - p - 1]);
        }
    }
    assert(has_point(t));
    assert(point_at(t) == p);
    assert(int_part(t) =~= int_text);
    assert(frac_part(t) =~= frac);
    assert(kept_frac_len(t) == 18);
    assert(frac.take(18) =~= frac);
    lemma_digits_value_append(int_text, frac);
    assert(pow10(0) == 1);
    assert(frac.len() == 18);
    assert(int_part(t) + frac_part(t).take(18) =~= int_text + frac);
    assert(digits_value(int_text + frac) == (n / e) * e + n % e);
    assert(amount_value(t) == digits_value(int_text + frac) * 1);
    assert(n == (n / e) * e + n % e) by (nonlinear_arith)
        requires
            e > 0,
    ;
    assert(t.len() >= 2);
    assert(t != seq!['.']) by {
        if t == seq!['.'] {
            assert(t.len() == 1);
        }
    }
}

} // verus!
