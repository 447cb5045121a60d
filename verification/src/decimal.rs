//! Fixed-point decimals.
//!
//! Prices and sizes are held as unsigned integers counting millionths
//! ("micro-units"): the price `0.52` is `520_000`. This keeps every
//! comparison and every sum exact. Text is read into micro-units by
//! [`parse_decimal`] and written back by [`fixed_text`].

use vstd::prelude::*;

verus! {

/// Micro-units per unit.
pub const SCALE: u64 = 1_000_000;

/// Digits kept after the decimal point when reading text.
pub const FRACTION_DIGITS: usize = 6;

/// Ten to the power `n`.
pub open spec fn pow10(n: nat) -> nat
    decreases n,
{
    if n == 0 {
        1
    } else {
        10 * pow10((n - 1) as nat)
    }
}

pub open spec fn is_digit(c: char) -> bool {
    '0' <= c && c <= '9'
}

/// The value of a decimal digit; meaningful where `is_digit(c)`.
pub open spec fn digit_value(c: char) -> nat {
    (c as int - 48) as nat
}

pub open spec fn all_digits(s: Seq<char>) -> bool {
    forall|i: int| 0 <= i < s.len() ==> is_digit(#[trigger] s[i])
}

/// The number that a string of digits writes in base ten; 0 for no digits.
pub open spec fn digits_value(s: Seq<char>) -> nat
    decreases s.len(),
{
    if s.len() == 0 {
        0
    } else {
        digits_value(s.drop_last()) * 10 + digit_value(s.last())
    }
}

/// The index of the first `'.'` in `s`, or `s.len()` where there is none.
pub open spec fn first_dot(s: Seq<char>) -> int
    decreases s.len(),
{
    if s.len() == 0 || s[0] == '.' {
        0
    } else {
        1 + first_dot(s.skip(1))
    }
}

/// The text after an optional leading `'+'`.
pub open spec fn unsigned_part(s: Seq<char>) -> Seq<char> {
    if s.len() > 0 && s[0] == '+' {
        s.skip(1)
    } else {
        s
    }
}

/// The digits before the decimal point.
pub open spec fn whole_digits(s: Seq<char>) -> Seq<char> {
    let body = unsigned_part(s);
    body.take(first_dot(body))
}

/// The digits after the decimal point; empty where there is no point.
pub open spec fn fraction_digits(s: Seq<char>) -> Seq<char> {
    let body = unsigned_part(s);
    if first_dot(body) < body.len() {
        body.skip(first_dot(body) + 1)
    } else {
        Seq::empty()
    }
}

/// Micro-units written by the fraction digits: the first six count, the
/// rest are cut off.
pub open spec fn fraction_micro(frac: Seq<char>) -> nat {
    if frac.len() >= 6 {
        digits_value(frac.take(6))
    } else {
        digits_value(frac) * pow10((6 - frac.len()) as nat)
    }
}

/// Whether `s` is written as `[+]digits[.digits]` with at least one digit.
pub open spec fn is_decimal_text(s: Seq<char>) -> bool {
    &&& all_digits(whole_digits(s))
    &&& all_digits(fraction_digits(s))
    &&& whole_digits(s).len() + fraction_digits(s).len() > 0
}

/// The micro-units that well-formed decimal text denotes, before any size
/// limit is applied.
pub open spec fn decimal_micro(s: Seq<char>) -> nat {
    digits_value(whole_digits(s)) * (SCALE as nat) + fraction_micro(fraction_digits(s))
}

/// What [`parse_decimal`] returns: the micro-units of well-formed text that
/// fit in 64 bits, `None` for everything else.
pub open spec fn parse_decimal_spec(s: Seq<char>) -> Option<u64> {
    if is_decimal_text(s) && decimal_micro(s) <= u64::MAX {
        Some(decimal_micro(s) as u64)
    } else {
        None
    }
}

pub proof fn lemma_first_dot(s: Seq<char>)
    ensures
        0 <= first_dot(s) <= s.len(),
        forall|j: int| 0 <= j < first_dot(s) ==> s[j] != '.',
        first_dot(s) < s.len() ==> s[first_dot(s)] == '.',
    decreases s.len(),
{
    if s.len() == 0 || s[0] == '.' {
    } else {
        let t = s.skip(1);
        lemma_first_dot(t);
        assert forall|j: int| 0 <= j < first_dot(s) implies s[j] != '.' by {
            if j > 0 {
                assert(t[j - 1] == s[j]);
            }
        }
        if first_dot(s) < s.len() {
            assert(t[first_dot(t)] == s[first_dot(s)]);
        }
    }
}

/// A position at which the first `'.'` stands, or the end where none does,
/// is `first_dot`.
pub proof fn lemma_first_dot_is(s: Seq<char>, i: int)
    requires
        0 <= i <= s.len(),
        forall|j: int| 0 <= j < i ==> s[j] != '.',
        i < s.len() ==> s[i] == '.',
    ensures
        first_dot(s) == i,
{
    lemma_first_dot(s);
    let d = first_dot(s);
    if d < i {
        assert(s[d] == '.');
    } else if i < d {
        assert(s[i] == '.');
    }
}

pub proof fn lemma_digits_value_push(s: Seq<char>, c: char)
    ensures
        digits_value(s.push(c)) == digits_value(s) * 10 + digit_value(c),
{
    assert(s.push(c).drop_last() =~= s);
}

/// The value of `c` where it is a decimal digit.
pub fn digit_of(c: char) -> (r: Option<u8>)
    ensures
        r is Some <==> is_digit(c),
        r matches Some(d) ==> d as nat == digit_value(c) && d <= 9,
{
    if '0' <= c && c <= '9' {
        Some((c as u32 - 48) as u8)
    } else {
        None
    }
}

/// Reads `[+]digits[.digits]` into micro-units: the form in which the
/// exchange writes prices and sizes. Digits past the sixth fraction digit
/// are cut off. Text in any other form (a sign `-`, an exponent, blanks, no
/// digit at all) and numbers that do not fit in 64 bits give `None`; the
/// book treats such an entry as malformed and passes over it.
pub fn parse_decimal(text: &str) -> (r: Option<u64>)
    ensures
        r == parse_decimal_spec(text@),
{
    let n = text.unicode_len();
    let ghost s = text@;
    let ghost body = unsigned_part(s);
    let start: usize = if n > 0 && text.get_char(0) == '+' {
        1
    } else {
        0
    };
    assert(body =~= s.skip(start as int));
    // The digits before the point.
    let mut i: usize = start;
    let mut whole: u128 = 0;
    let mut too_big = false;
    let mut at_dot = false;
    while i < n && !at_dot
        invariant
            start <= i <= n,
            s == text@,
            n == s.len(),
            body == unsigned_part(s),
            body == s.skip(start as int),
            forall|j: int| 0 <= j < i - start ==> is_digit(#[trigger] body[j]),
            !too_big ==> whole == digits_value(body.take(i - start)) && whole <= u64::MAX,
            too_big ==> digits_value(body.take(i - start)) > u64::MAX,
            at_dot ==> i < n && body[i - start] == '.',
        decreases n - i + if at_dot { 0int } else { 1int },
    {
        let c = text.get_char(i);
        assert(body[i - start] == c);
        if c == '.' {
            at_dot = true;
        } else {
            match digit_of(c) {
                None => {
                    proof {
                        let k = i - start;
                        assert forall|j: int| 0 <= j <= k implies body[j] != '.' by {
                            if j < k {
                                assert(is_digit(body[j]));
                            }
                        }
                        lemma_first_dot(body);
                        if first_dot(body) <= k {
                            assert(body[first_dot(body)] == '.');
                        }
                        assert(k < first_dot(body));
                        assert(whole_digits(s) == body.take(first_dot(body)));
                        assert(whole_digits(s)[k] == body[k]);
                        assert(!all_digits(whole_digits(s)));
                    }
                    return None;
                },
                Some(d) => {
                    proof {
                        let k = i - start;
                        assert(body.take(k + 1) =~= body.take(k).push(c));
                        lemma_digits_value_push(body.take(k), c);
                    }
                    if !too_big {
                        whole = whole * 10 + d as u128;
                        if whole > u64::MAX as u128 {
                            too_big = true;
                        }
                    }
                    i = i + 1;
                },
            }
        }
    }
    let ghost dot = i - start;
    proof {
        assert forall|j: int| 0 <= j < dot implies body[j] != '.' by {
            assert(is_digit(body[j]));
        }
        lemma_first_dot_is(body, dot);
        assert(whole_digits(s) == body.take(dot));
        assert(all_digits(whole_digits(s)));
    }
    let whole_len = i - start;
    // The digits after the point.
    let frac_start: usize = if at_dot {
        i + 1
    } else {
        n
    };
    let ghost frac = fraction_digits(s);
    assert(frac =~= s.skip(frac_start as int));
    let mut j: usize = frac_start;
    let mut micro: u128 = 0;
    let mut kept: usize = 0;
    while j < n
        invariant
            frac_start <= j <= n,
            s == text@,
            n == s.len(),
            frac == fraction_digits(s),
            frac == s.skip(frac_start as int),
            forall|k: int| 0 <= k < j - frac_start ==> is_digit(#[trigger] frac[k]),
            kept == if j - frac_start < 6 { j - frac_start } else { 6 },
            micro == digits_value(frac.take(kept as int)),
            micro < pow10(kept as nat),
        decreases n - j,
    {
        let c = text.get_char(j);
        assert(frac[j - frac_start] == c);
        match digit_of(c) {
            None => {
                assert(!all_digits(frac));
                return None;
            },
            Some(d) => {
                if kept < 6 {
                    proof {
                        assert(frac.take(kept + 1) =~= frac.take(kept as int).push(c));
                        lemma_digits_value_push(frac.take(kept as int), c);
                        assert(pow10((kept + 1) as nat) == 10 * pow10(kept as nat));
                        lemma_pow10_bound(kept as nat);
                    }
                    micro = micro * 10 + d as u128;
                    kept = kept + 1;
                }
                j = j + 1;
            },
        }
    }
    assert(all_digits(frac));
    let frac_len = n - frac_start;
    assert(frac_len == frac.len());
    if whole_len + frac_len == 0 {
        return None;
    }
    // Pad a short fraction with zeros.
    assert(pow10(0) == 1);
    assert(micro == digits_value(frac.take(kept as int)) * pow10((kept - kept) as nat)) by {
        lemma_mul_one(digits_value(frac.take(kept as int)), pow10(0));
    }
    let mut pad: usize = kept;
    while pad < 6
        invariant
            kept <= pad <= 6,
            frac.len() < 6 ==> kept == frac.len(),
            frac.len() >= 6 ==> kept == 6,
            micro == digits_value(frac.take(kept as int)) * pow10((pad - kept) as nat),
            micro < pow10(pad as nat),
        decreases 6 - pad,
    {
        proof {
            assert(pow10((pad + 1) as nat) == 10 * pow10(pad as nat));
            assert(pow10((pad + 1 - kept) as nat) == 10 * pow10((pad - kept) as nat));
            lemma_pow10_bound(pad as nat);
            assert(digits_value(frac.take(kept as int)) * (10 * pow10((pad - kept) as nat)) == 10
                * (digits_value(frac.take(kept as int)) * pow10((pad - kept) as nat)))
                by (nonlinear_arith);
        }
        micro = micro * 10;
        pad = pad + 1;
    }
    proof {
        lemma_pow10_bound(6);
        lemma_mul_one(digits_value(frac.take(kept as int)), pow10(0));
        if frac.len() < 6 {
            assert(frac.take(kept as int) =~= frac);
        }
        assert(micro == fraction_micro(frac));
    }
    if too_big {
        proof {
            assert(decimal_micro(s) >= digits_value(whole_digits(s))) by (nonlinear_arith)
                requires
                    decimal_micro(s) == digits_value(whole_digits(s)) * 1_000_000
                        + fraction_micro(fraction_digits(s)),
            ;
        }
        return None;
    }
    let total: u128 = whole * (SCALE as u128) + micro;
    if total > u64::MAX as u128 {
        None
    } else {
        Some(total as u64)
    }
}

proof fn lemma_mul_one(x: nat, one: nat)
    requires
        one == 1,
    ensures
        x * one == x,
{
}

/// Powers of ten that the library computes with fit comfortably in 64 bits.
pub proof fn lemma_pow10_bound(n: nat)
    requires
        n <= 6,
    ensures
        1 <= pow10(n) <= 1_000_000,
        n == 6 ==> pow10(n) == 1_000_000,
    decreases n,
{
    reveal_with_fuel(pow10, 7);
}

/// The character that writes the digit `d`.
pub open spec fn digit_char(d: nat) -> char {
    if d == 0 {
        '0'
    } else if d == 1 {
        '1'
    } else if d == 2 {
        '2'
    } else if d == 3 {
        '3'
    } else if d == 4 {
        '4'
    } else if d == 5 {
        '5'
    } else if d == 6 {
        '6'
    } else if d == 7 {
        '7'
    } else if d == 8 {
        '8'
    } else {
        '9'
    }
}

/// `n` in base ten, without leading zeros.
pub open spec fn nat_text(n: nat) -> Seq<char>
    decreases n,
{
    if n < 10 {
        seq![digit_char(n)]
    } else {
        nat_text(n / 10).push(digit_char(n % 10))
    }
}

/// The last `width` digits of `n` in base ten, with leading zeros.
pub open spec fn padded_text(n: nat, width: nat) -> Seq<char>
    decreases width,
{
    if width == 0 {
        Seq::empty()
    } else {
        padded_text(n / 10, (width - 1) as nat).push(digit_char(n % 10))
    }
}

/// `micro` counted in units of `10^-digits`, rounded to the nearest unit,
/// halves upward.
pub open spec fn rounded_units(micro: nat, digits: nat) -> nat {
    let p = pow10((6 - digits) as nat);
    micro / p + if 2 * (micro % p) >= p {
        1nat
    } else {
        0nat
    }
}

/// What [`fixed_text`] writes: the rounded value with exactly `digits`
/// digits after the point, and no point where `digits` is 0.
pub open spec fn fixed_text_spec(micro: nat, digits: nat) -> Seq<char> {
    let q = rounded_units(micro, digits);
    let p = pow10(digits);
    if digits == 0 {
        nat_text(q)
    } else {
        nat_text(q / p) + seq!['.'] + padded_text(q % p, digits)
    }
}

/// The one-character text of a digit.
fn digit_str(d: u8) -> (r: &'static str)
    requires
        d <= 9,
    ensures
        r@ == seq![digit_char(d as nat)],
{
    proof {
        reveal_strlit("0");
        reveal_strlit("1");
        reveal_strlit("2");
        reveal_strlit("3");
        reveal_strlit("4");
        reveal_strlit("5");
        reveal_strlit("6");
        reveal_strlit("7");
        reveal_strlit("8");
        reveal_strlit("9");
    }
    let r = if d == 0 {
        "0"
    } else if d == 1 {
        "1"
    } else if d == 2 {
        "2"
    } else if d == 3 {
        "3"
    } else if d == 4 {
        "4"
    } else if d == 5 {
        "5"
    } else if d == 6 {
        "6"
    } else if d == 7 {
        "7"
    } else if d == 8 {
        "8"
    } else {
        "9"
    };
    assert(r@ =~= seq![digit_char(d as nat)]);
    r
}

/// Writes `n` in base ten.
pub fn nat_to_text(n: u128) -> (r: String)
    ensures
        r@ == nat_text(n as nat),
    decreases n,
{
    if n < 10 {
        String::from_str(digit_str(n as u8))
    } else {
        let mut r = nat_to_text(n / 10);
        r.append(digit_str((n % 10) as u8));
        assert(r@ =~= nat_text(n as nat));
        r
    }
}

/// Writes the last `width` digits of `n`, with leading zeros.
pub fn padded_to_text(n: u128, width: usize) -> (r: String)
    ensures
        r@ == padded_text(n as nat, width as nat),
    decreases width,
{
    if width == 0 {
        String::new()
    } else {
        let mut r = padded_to_text(n / 10, width - 1);
        r.append(digit_str((n % 10) as u8));
        assert(r@ =~= padded_text(n as nat, width as nat));
        r
    }
}

/// Ten to the power `n` as a machine integer.
pub fn pow10_of(n: usize) -> (r: u128)
    requires
        n <= 6,
    ensures
        r == pow10(n as nat),
        1 <= r <= 1_000_000,
{
    let mut r: u128 = 1;
    let mut i: usize = 0;
    while i < n
        invariant
            i <= n <= 6,
            r == pow10(i as nat),
            1 <= r <= 1_000_000,
        decreases n - i,
    {
        proof {
            lemma_pow10_bound((i + 1) as nat);
        }
        r = r * 10;
        i = i + 1;
    }
    r
}

/// Writes a micro-unit amount with `digits` digits after the point
/// (`digits <= 6`), rounded to the nearest, halves upward: 30_000 with four
/// digits is `0.0300`.
pub fn fixed_text(micro: u128, digits: usize) -> (r: String)
    requires
        digits <= 6,
    ensures
        r@ == fixed_text_spec(micro as nat, digits as nat),
{
    let cut = pow10_of(6 - digits);
    let p = pow10_of(digits);
    let rem = micro % cut;
    let base = micro / cut;
    // rem < cut <= 10^6, so doubling cannot overflow.
    let q: u128 = if 2 * rem >= cut && base < u128::MAX {
        base + 1
    } else {
        base
    };
    proof {
        // base + 1 overflows only where cut == 1, and then rem == 0.
        if 2 * rem >= cut && base == u128::MAX {
            assert(cut == 1) by (nonlinear_arith)
                requires
                    base == micro / cut,
                    base == u128::MAX,
                    micro <= u128::MAX,
                    cut >= 1,
            ;
        }
        assert(q == rounded_units(micro as nat, digits as nat));
    }
    if digits == 0 {
        nat_to_text(q)
    } else {
        let mut r = nat_to_text(q / p);
        proof {
            reveal_strlit(".");
        }
        r.append(".");
        let f = padded_to_text(q % p, digits);
        r.append(f.as_str());
        assert(r@ =~= fixed_text_spec(micro as nat, digits as nat));
        r
    }
}

/// The digits after the point that show a price of an instrument with
/// the tick size `tick`: the least `d` up to 6 for which the tick is at
/// least `10^-d`; 6 for a tick of 0.
pub open spec fn decimal_places_spec(tick: u64, d: nat) -> nat
    decreases 6 - d,
{
    if d >= 6 || tick >= pow10((6 - d) as nat) {
        d
    } else {
        decimal_places_spec(tick, d + 1)
    }
}

/// The digits after the point that show a price of an instrument with the
/// tick size `tick`: 2 for a tick of 0.01, 4 for 0.0001, 0 for a tick of 1
/// or more.
pub fn decimal_places(tick: u64) -> (r: usize)
    ensures
        r == decimal_places_spec(tick, 0),
        r <= 6,
{
    let mut d: usize = 0;
    while d < 6 && (tick as u128) < pow10_of(6 - d)
        invariant
            d <= 6,
            decimal_places_spec(tick, 0) == decimal_places_spec(tick, d as nat),
        decreases 6 - d,
    {
        d = d + 1;
    }
    d
}

} // verus!
